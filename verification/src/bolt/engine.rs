//! The calls into sled, each with what sled's source shows of it.
use vstd::prelude::*;
use crate::bolt::keys::lex_lt;

verus! {

/// A sled database.
#[verifier::external_type_specification]
#[verifier::external_body]
pub struct ExSledDb(sled::Db);

/// A tree (keyspace) of a sled database.
#[verifier::external_type_specification]
#[verifier::external_body]
pub struct ExSledTree(sled::Tree);

/// An error reported by sled.
#[verifier::external_type_specification]
#[verifier::external_body]
pub struct ExSledError(sled::Error);

/// The entries that a tree holds at this point of the program.
pub uninterp spec fn tree_entries(t: sled::Tree) -> Map<Seq<u8>, Seq<u8>>;

/// The bytes of an optional value.
pub open spec fn opt_bytes(v: Option<Vec<u8>>) -> Option<Seq<u8>> {
    match v {
        Some(b) => Some(b@),
        None => None,
    }
}

/// Whether `v` lists the entries of `m`, each once, in increasing key order.
pub open spec fn lists_entries(v: Seq<(Vec<u8>, Vec<u8>)>, m: Map<Seq<u8>, Seq<u8>>) -> bool {
    &&& forall|i: int, j: int| 0 <= i < j < v.len() ==> lex_lt(#[trigger] v[i].0@, #[trigger] v[j].0@)
    &&& forall|i: int| 0 <= i < v.len() ==> m.contains_key(#[trigger] v[i].0@) && m[v[i].0@] == v[i].1@
    &&& forall|k: Seq<u8>| #[trigger] m.contains_key(k) ==> exists|i: int| 0 <= i < v.len() && v[i].0@ == k
}

/// Opens the database at `path` with `sled::open`. Nothing is stated of what
/// the database holds: that is on disk.
#[verifier::external_body]
pub fn sled_open(path: &str) -> (r: Result<sled::Db, sled::Error>) {
    sled::open(path)
}

/// Opens (or creates) the tree `name` with `sled::Db::open_tree`. Nothing is
/// stated of its entries: they are on disk.
#[verifier::external_body]
pub fn sled_open_tree(db: &sled::Db, name: &str) -> (r: Result<sled::Tree, sled::Error>) {
    db.open_tree(name.as_bytes())
}

/// Removes the tree `name` with `sled::Db::drop_tree`; the result says
/// whether it existed. Nothing is stated of it.
#[verifier::external_body]
pub fn sled_drop_tree(db: &sled::Db, name: &str) -> (r: Result<bool, sled::Error>) {
    db.drop_tree(name.as_bytes())
}

/// Writes the database to disk with `sled::Db::flush`.
#[verifier::external_body]
pub fn sled_flush(db: &sled::Db) -> (r: Result<usize, sled::Error>) {
    db.flush()
}

/// Looks a key up with `sled::Tree::get`: on success, the value the tree
/// holds under the key, if any.
#[verifier::external_body]
pub fn sled_get(t: &sled::Tree, key: &[u8]) -> (r: Result<Option<Vec<u8>>, sled::Error>)
    ensures
        r matches Ok(v) ==> opt_bytes(v) == (if tree_entries(*t).contains_key(key@) {
            Some(tree_entries(*t)[key@])
        } else {
            None
        }),
{
    match t.get(key) {
        Ok(Some(v)) => Ok(Some(v.to_vec())),
        Ok(None) => Ok(None),
        Err(e) => Err(e),
    }
}

/// Stores `value` under `key` with `sled::Tree::insert`: on success the tree
/// holds the new value, the rest unchanged, and the previous value comes
/// back. Nothing is stated of the tree after a failure.
#[verifier::external_body]
pub fn sled_insert(t: &mut sled::Tree, key: &[u8], value: &[u8]) -> (r: Result<Option<Vec<u8>>, sled::Error>)
    ensures
        r matches Ok(prev) ==> {
            &&& tree_entries(*final(t)) == tree_entries(*old(t)).insert(key@, value@)
            &&& opt_bytes(prev) == (if tree_entries(*old(t)).contains_key(key@) {
                Some(tree_entries(*old(t))[key@])
            } else {
                None
            })
        },
{
    match t.insert(key, value) {
        Ok(Some(v)) => Ok(Some(v.to_vec())),
        Ok(None) => Ok(None),
        Err(e) => Err(e),
    }
}

/// Deletes `key` with `sled::Tree::remove`: on success the tree no longer
/// holds it, the rest unchanged, and the removed value comes back. Nothing
/// is stated of the tree after a failure.
#[verifier::external_body]
pub fn sled_remove(t: &mut sled::Tree, key: &[u8]) -> (r: Result<Option<Vec<u8>>, sled::Error>)
    ensures
        r matches Ok(prev) ==> {
            &&& tree_entries(*final(t)) == tree_entries(*old(t)).remove(key@)
            &&& opt_bytes(prev) == (if tree_entries(*old(t)).contains_key(key@) {
                Some(tree_entries(*old(t))[key@])
            } else {
                None
            })
        },
{
    match t.remove(key) {
        Ok(Some(v)) => Ok(Some(v.to_vec())),
        Ok(None) => Ok(None),
        Err(e) => Err(e),
    }
}

/// Reads every entry with `sled::Tree::iter`: on success, all entries of the
/// tree in increasing byte order of their keys, as sled keeps them.
#[verifier::external_body]
pub fn sled_entries(t: &sled::Tree) -> (r: Result<Vec<(Vec<u8>, Vec<u8>)>, sled::Error>)
    ensures
        r matches Ok(v) ==> lists_entries(v@, tree_entries(*t)),
{
    let mut out = Vec::new();
    for item in t.iter() {
        match item {
            Ok((k, v)) => out.push((k.to_vec(), v.to_vec())),
            Err(e) => return Err(e),
        }
    }
    Ok(out)
}

/// The message of a sled error, as its `Display` writes it.
#[verifier::external_body]
pub fn sled_error_text(e: &sled::Error) -> (s: String) {
    e.to_string()
}

} // verus!
