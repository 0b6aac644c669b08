//! What the store keeps in its buckets: objects of projects under padded
//! decimal keys, records under reversed big-endian keys, schema versions and
//! options.
use vstd::prelude::*;
use vstd::utf8::{decode_utf8, encode_utf8, encode_utf8_decode_utf8, encode_utf8_valid_utf8, valid_utf8};
use crate::bolt::engine::{lists_entries, opt_bytes};
use crate::bolt::keys::{
    lemma_object_key_injective, lemma_record_key_injective, lemma_text_bytes_injective, lemma_version_key_injective, object_key, object_key_bytes, project_bucket, project_bucket_name, record_key, record_key_bytes, text_bytes,
    text_to_bytes, version_key, version_key_bytes,
};
use crate::bolt::store::{BoltStore, counter_or_zero, lemma_same_except_trans, same_except};
use crate::error::{DbError, not_found, not_found_with_id};
use crate::model::RetrieveQueryParams;
use crate::text::{decimal_int, digit_char, hex_nat};

verus! {

/// Whether `v` holds the values of the entries `e[from..to]`, in order.
pub open spec fn values_of(v: Seq<Vec<u8>>, e: Seq<(Vec<u8>, Vec<u8>)>, from: int, to: int) -> bool {
    &&& v.len() == to - from
    &&& forall|i: int| 0 <= i < v.len() ==> #[trigger] v[i]@ == e[from + i].1@
}

/// Where a page of `len` entries that skips `offset` of them starts.
pub open spec fn page_start(len: int, offset: int) -> int {
    if offset < len { offset } else { len }
}

/// Where a page of at most `limit` entries that skips `offset` of them ends.
pub open spec fn page_end(len: int, offset: int, limit: int) -> int {
    if page_start(len, offset) + limit < len { page_start(len, offset) + limit } else { len }
}

/// How serde_json writes one character inside a JSON string.
pub open spec fn json_char(c: char) -> Seq<char> {
    if c == '"' {
        seq!['\\', '"']
    } else if c == '\\' {
        seq!['\\', '\\']
    } else if c == '\x08' {
        seq!['\\', 'b']
    } else if c == '\x0c' {
        seq!['\\', 'f']
    } else if c == '\n' {
        seq!['\\', 'n']
    } else if c == '\r' {
        seq!['\\', 'r']
    } else if c == '\t' {
        seq!['\\', 't']
    } else if (c as u32) < 0x20 {
        seq!['\\', 'u', '0', '0', digit_char((c as u32 / 16) as nat), digit_char((c as u32 % 16) as nat)]
    } else {
        seq![c]
    }
}

/// The characters of a text written as a JSON string, escapes included.
pub open spec fn json_chars(s: Seq<char>) -> Seq<char>
    decreases s.len(),
{
    if s.len() == 0 {
        seq![]
    } else {
        json_chars(s.drop_last()) + json_char(s.last())
    }
}

/// The bytes serde_json writes for a string: the escaped text in quotes, in UTF-8.
pub open spec fn json_string_bytes(s: Seq<char>) -> Seq<u8> {
    encode_utf8(seq!['"'] + json_chars(s) + seq!['"'])
}

/// A JSON error.
#[verifier::external_type_specification]
#[verifier::external_body]
pub struct ExJsonError(serde_json::Error);

/// Writes a string as JSON with `serde_json::to_vec`: on success, the text
/// in quotes with `"`, `\` and control characters escaped as serde_json's
/// escape table does.
#[verifier::external_body]
pub fn json_encode_string(s: &str) -> (r: Result<Vec<u8>, serde_json::Error>)
    ensures
        r matches Ok(b) ==> b@ == json_string_bytes(s@),
{
    serde_json::to_vec(s)
}

/// The message of a JSON error, as its `Display` writes it.
#[verifier::external_body]
pub fn json_error_text(e: &serde_json::Error) -> (s: String) {
    e.to_string()
}

/// The text that `String::from_utf8_lossy` makes of some bytes.
pub uninterp spec fn utf8_lossy(b: Seq<u8>) -> Seq<char>;

/// Decodes bytes with `String::from_utf8_lossy`: valid UTF-8 is decoded as
/// it stands; the result in general stands under the name `utf8_lossy`.
#[verifier::external_body]
pub fn decode_lossy(b: &[u8]) -> (s: String)
    ensures
        s@ == utf8_lossy(b@),
        valid_utf8(b@) ==> s@ == decode_utf8(b@),
{
    String::from_utf8_lossy(b).into_owned()
}

/// The bucket holding the applied schema versions.
pub open spec fn migration_bucket() -> Seq<char> {
    "migration"@
}

/// The bucket holding the options.
pub open spec fn options_bucket() -> Seq<char> {
    "options"@
}

impl BoltStore {
    /// Opens the bucket `name` without reading or changing it.
    pub fn open_bucket(&mut self, name: &str) -> (r: Result<(), DbError>)
        ensures
            final(self).counters() == old(self).counters(),
            final(self).path() == old(self).path(),
            match r {
                Ok(_) => same_except(old(self).buckets(), final(self).buckets(), name@)
                    && (old(self).buckets().contains_key(name@) ==> final(self).buckets() == old(self).buckets()),
                Err(e) => e is Database && (old(self).buckets().contains_key(name@)
                    ==> final(self).buckets() == old(self).buckets()),
            },
    {
        match self.bucket_get(name, &[]) {
            Ok(_) => Ok(()),
            Err(e) => Err(e),
        }
    }

    /// Stores a new object in the project's bucket `<project_id>_<bucket_name>`
    /// under the next id of `bucket_name`, written in ten zero-filled digits.
    pub fn create_object(&mut self, project_id: i32, bucket_name: &str, value: &[u8]) -> (r: Result<(), DbError>)
        requires
            counter_or_zero(old(self).counters(), bucket_name@) < i32::MAX,
        ensures
            final(self).path() == old(self).path(),
            r matches Ok(_) ==> {
                let tree = project_bucket_name(project_id as int, bucket_name@);
                let id = counter_or_zero(old(self).counters(), bucket_name@) + 1;
                &&& final(self).counters() == old(self).counters().insert(bucket_name@, id as i32)
                &&& same_except(old(self).buckets(), final(self).buckets(), tree)
                &&& final(self).buckets()[tree].contains_key(object_key(id))
                &&& final(self).buckets()[tree][object_key(id)] == value@
                &&& old(self).buckets().contains_key(tree) ==> final(self).buckets()[tree]
                    == old(self).buckets()[tree].insert(object_key(id), value@)
            },
            r matches Err(e) ==> e is Database,
    {
        let tree = project_bucket(project_id, bucket_name);
        let ghost before = self.buckets();
        match self.open_bucket(tree.as_str()) {
            Ok(_) => {},
            Err(e) => { return Err(e); },
        }
        let id = self.next_id(bucket_name);
        let ghost mid = self.buckets();
        let key = object_key_bytes(id);
        let r = self.bucket_insert(tree.as_str(), key.as_slice(), value);
        proof {
            if r is Ok {
                lemma_same_except_trans(before, mid, self.buckets(), tree@);
            }
        }
        r
    }

    /// The object with the given id in the project's bucket, or
    /// `Object <id> not found in <bucket_name>`.
    pub fn get_object(&mut self, project_id: i32, bucket_name: &str, id: i32) -> (r: Result<Vec<u8>, DbError>)
        ensures
            final(self).counters() == old(self).counters(),
            final(self).path() == old(self).path(),
            ({
                let tree = project_bucket_name(project_id as int, bucket_name@);
                match r {
                    Ok(v) => {
                        &&& same_except(old(self).buckets(), final(self).buckets(), tree)
                        &&& old(self).buckets().contains_key(tree) ==> final(self).buckets() == old(self).buckets()
                        &&& final(self).buckets()[tree].contains_key(object_key(id as int))
                        &&& final(self).buckets()[tree][object_key(id as int)] == v@
                    },
                    Err(DbError::NotFound(m)) => {
                        &&& same_except(old(self).buckets(), final(self).buckets(), tree)
                        &&& old(self).buckets().contains_key(tree) ==> final(self).buckets() == old(self).buckets()
                        &&& !final(self).buckets()[tree].contains_key(object_key(id as int))
                        &&& m@ == "Object "@ + decimal_int(id as int) + " not found in "@ + bucket_name@
                    },
                    Err(e) => e is Database,
                }
            }),
    {
        let tree = project_bucket(project_id, bucket_name);
        let key = object_key_bytes(id);
        match self.bucket_get(tree.as_str(), key.as_slice()) {
            Ok(Some(v)) => Ok(v),
            Ok(None) => {
                let mut msg = crate::text::chars_of("Object ");
                crate::text::push_int(id as i64, &mut msg);
                crate::text::append_chars(&mut msg, &crate::text::chars_of(" not found in "));
                crate::text::append_chars(&mut msg, &crate::text::chars_of(bucket_name));
                Err(DbError::NotFound(crate::text::string_of(&msg)))
            },
            Err(e) => Err(e),
        }
    }

    /// A page of the objects of the project's bucket in key order: from
    /// position `params.offset` on, at most `params.count` of them (1000
    /// when no count is given).
    pub fn get_objects(&mut self, project_id: i32, bucket_name: &str, params: &RetrieveQueryParams) -> (r: Result<Vec<Vec<u8>>, DbError>)
        ensures
            final(self).counters() == old(self).counters(),
            final(self).path() == old(self).path(),
            ({
                let tree = project_bucket_name(project_id as int, bucket_name@);
                let limit: nat = match params.count { Some(c) => c as nat, None => 1000 };
                match r {
                    Ok(v) => {
                        &&& same_except(old(self).buckets(), final(self).buckets(), tree)
                        &&& old(self).buckets().contains_key(tree) ==> final(self).buckets() == old(self).buckets()
                        &&& exists|e: Seq<(Vec<u8>, Vec<u8>)>| lists_entries(e, final(self).buckets()[tree])
                            && values_of(v@, e, page_start(e.len() as int, params.offset as int),
                                page_end(e.len() as int, params.offset as int, limit as int))
                    },
                    Err(e) => e is Database,
                }
            }),
    {
        let tree = project_bucket(project_id, bucket_name);
        let entries = match self.bucket_entries(tree.as_str()) {
            Ok(e) => e,
            Err(e) => { return Err(e); },
        };
        let offset = params.offset;
        let limit: usize = match params.count { Some(c) => c, None => 1000 };
        let mut objects: Vec<Vec<u8>> = Vec::new();
        let mut count: usize = 0;
        let ghost from = page_start(entries@.len() as int, offset as int);
        let ghost to = page_end(entries@.len() as int, offset as int, limit as int);
        while count < entries.len()
            invariant
                count <= entries@.len(),
                from == page_start(entries@.len() as int, offset as int),
                to == page_end(entries@.len() as int, offset as int, limit as int),
                values_of(objects@, entries@, from, if count < from { from } else if count < to { count as int } else { to }),
            decreases entries.len() - count,
        {
            if count >= offset && objects.len() < limit {
                objects.push(entries[count].1.clone());
            }
            count = count + 1;
        }
        Ok(objects)
    }

    /// Stores `value` under the object's key in the project's bucket,
    /// whether or not an object is there.
    pub fn update_object(&mut self, project_id: i32, bucket_name: &str, id: i32, value: &[u8]) -> (r: Result<(), DbError>)
        ensures
            final(self).counters() == old(self).counters(),
            final(self).path() == old(self).path(),
            ({
                let tree = project_bucket_name(project_id as int, bucket_name@);
                match r {
                    Ok(_) => {
                        &&& same_except(old(self).buckets(), final(self).buckets(), tree)
                        &&& final(self).buckets()[tree].contains_key(object_key(id as int))
                        &&& final(self).buckets()[tree][object_key(id as int)] == value@
                        &&& old(self).buckets().contains_key(tree) ==> final(self).buckets()[tree]
                            == old(self).buckets()[tree].insert(object_key(id as int), value@)
                    },
                    Err(e) => e is Database,
                }
            }),
    {
        let tree = project_bucket(project_id, bucket_name);
        let key = object_key_bytes(id);
        self.bucket_insert(tree.as_str(), key.as_slice(), value)
    }

    /// Removes the object's key from the project's bucket, if it is there.
    pub fn delete_object(&mut self, project_id: i32, bucket_name: &str, id: i32) -> (r: Result<(), DbError>)
        ensures
            final(self).counters() == old(self).counters(),
            final(self).path() == old(self).path(),
            ({
                let tree = project_bucket_name(project_id as int, bucket_name@);
                match r {
                    Ok(_) => {
                        &&& same_except(old(self).buckets(), final(self).buckets(), tree)
                        &&& !final(self).buckets()[tree].contains_key(object_key(id as int))
                        &&& old(self).buckets().contains_key(tree) ==> final(self).buckets()[tree]
                            == old(self).buckets()[tree].remove(object_key(id as int))
                    },
                    Err(e) => e is Database,
                }
            }),
    {
        let tree = project_bucket(project_id, bucket_name);
        let key = object_key_bytes(id);
        match self.bucket_remove(tree.as_str(), key.as_slice()) {
            Ok(_) => Ok(()),
            Err(e) => Err(e),
        }
    }

    // ---- records under reversed big-endian keys ----

    /// Stores `value` as the record with the given id of the bucket.
    pub fn put_record(&mut self, bucket: &str, id: i32, value: &[u8]) -> (r: Result<(), DbError>)
        requires
            id >= 0,
        ensures
            final(self).counters() == old(self).counters(),
            final(self).path() == old(self).path(),
            match r {
                Ok(_) => {
                    &&& same_except(old(self).buckets(), final(self).buckets(), bucket@)
                    &&& final(self).buckets()[bucket@].contains_key(record_key(id as int))
                    &&& final(self).buckets()[bucket@][record_key(id as int)] == value@
                    &&& old(self).buckets().contains_key(bucket@) ==> final(self).buckets()[bucket@]
                        == old(self).buckets()[bucket@].insert(record_key(id as int), value@)
                },
                Err(e) => e is Database,
            },
    {
        let key = record_key_bytes(id);
        self.bucket_insert(bucket, key.as_slice(), value)
    }

    /// The record with the given id of the bucket, or the error `missing`.
    pub fn get_record(&mut self, bucket: &str, id: i32, missing: &str) -> (r: Result<Vec<u8>, DbError>)
        requires
            id >= 0,
        ensures
            final(self).counters() == old(self).counters(),
            final(self).path() == old(self).path(),
            match r {
                Ok(v) => {
                    &&& same_except(old(self).buckets(), final(self).buckets(), bucket@)
                    &&& old(self).buckets().contains_key(bucket@) ==> final(self).buckets() == old(self).buckets()
                    &&& final(self).buckets()[bucket@].contains_key(record_key(id as int))
                    &&& final(self).buckets()[bucket@][record_key(id as int)] == v@
                },
                Err(DbError::NotFound(m)) => {
                    &&& same_except(old(self).buckets(), final(self).buckets(), bucket@)
                    &&& old(self).buckets().contains_key(bucket@) ==> final(self).buckets() == old(self).buckets()
                    &&& !final(self).buckets()[bucket@].contains_key(record_key(id as int))
                    &&& m@ == missing@
                },
                Err(e) => e is Database,
            },
    {
        let key = record_key_bytes(id);
        match self.bucket_get(bucket, key.as_slice()) {
            Ok(Some(v)) => Ok(v),
            Ok(None) => Err(not_found(missing)),
            Err(e) => Err(e),
        }
    }

    /// Replaces the record with the given id of the bucket, or gives the
    /// error `missing` where there is none.
    pub fn replace_record(&mut self, bucket: &str, id: i32, value: &[u8], missing: &str) -> (r: Result<(), DbError>)
        requires
            id >= 0,
        ensures
            final(self).counters() == old(self).counters(),
            final(self).path() == old(self).path(),
            match r {
                Ok(_) => {
                    &&& same_except(old(self).buckets(), final(self).buckets(), bucket@)
                    &&& final(self).buckets()[bucket@].contains_key(record_key(id as int))
                    &&& final(self).buckets()[bucket@][record_key(id as int)] == value@
                    &&& old(self).buckets().contains_key(bucket@) ==> {
                        &&& old(self).buckets()[bucket@].contains_key(record_key(id as int))
                        &&& final(self).buckets()[bucket@]
                            == old(self).buckets()[bucket@].insert(record_key(id as int), value@)
                    }
                },
                Err(DbError::NotFound(m)) => {
                    &&& same_except(old(self).buckets(), final(self).buckets(), bucket@)
                    &&& old(self).buckets().contains_key(bucket@) ==> final(self).buckets() == old(self).buckets()
                    &&& !final(self).buckets()[bucket@].contains_key(record_key(id as int))
                    &&& m@ == missing@
                },
                Err(e) => e is Database,
            },
    {
        let key = record_key_bytes(id);
        let ghost before = self.buckets();
        match self.bucket_get(bucket, key.as_slice()) {
            Ok(Some(_)) => {},
            Ok(None) => { return Err(not_found(missing)); },
            Err(e) => { return Err(e); },
        }
        let ghost mid = self.buckets();
        let r = self.bucket_insert(bucket, key.as_slice(), value);
        proof {
            if r is Ok {
                lemma_same_except_trans(before, mid, self.buckets(), bucket@);
            }
        }
        r
    }

    /// Removes the record with the given id of the bucket, or gives the
    /// error `missing` where there is none.
    pub fn remove_record(&mut self, bucket: &str, id: i32, missing: &str) -> (r: Result<(), DbError>)
        requires
            id >= 0,
        ensures
            final(self).counters() == old(self).counters(),
            final(self).path() == old(self).path(),
            match r {
                Ok(_) => {
                    &&& same_except(old(self).buckets(), final(self).buckets(), bucket@)
                    &&& !final(self).buckets()[bucket@].contains_key(record_key(id as int))
                    &&& old(self).buckets().contains_key(bucket@) ==> {
                        &&& old(self).buckets()[bucket@].contains_key(record_key(id as int))
                        &&& final(self).buckets()[bucket@]
                            == old(self).buckets()[bucket@].remove(record_key(id as int))
                    }
                },
                Err(DbError::NotFound(m)) => {
                    &&& same_except(old(self).buckets(), final(self).buckets(), bucket@)
                    &&& old(self).buckets().contains_key(bucket@) ==> final(self).buckets() == old(self).buckets()
                    &&& !final(self).buckets()[bucket@].contains_key(record_key(id as int))
                    &&& m@ == missing@
                },
                Err(e) => e is Database,
            },
    {
        let key = record_key_bytes(id);
        let ghost before = self.buckets();
        match self.bucket_get(bucket, key.as_slice()) {
            Ok(Some(_)) => {},
            Ok(None) => { return Err(not_found(missing)); },
            Err(e) => { return Err(e); },
        }
        let ghost mid = self.buckets();
        match self.bucket_remove(bucket, key.as_slice()) {
            Ok(_) => {
                proof { lemma_same_except_trans(before, mid, self.buckets(), bucket@); }
                Ok(())
            },
            Err(e) => Err(e),
        }
    }

    /// The values of all entries of the bucket in key order; for a record
    /// bucket, newest record first.
    pub fn bucket_values(&mut self, bucket: &str) -> (r: Result<Vec<Vec<u8>>, DbError>)
        ensures
            final(self).counters() == old(self).counters(),
            final(self).path() == old(self).path(),
            match r {
                Ok(v) => {
                    &&& same_except(old(self).buckets(), final(self).buckets(), bucket@)
                    &&& old(self).buckets().contains_key(bucket@) ==> final(self).buckets() == old(self).buckets()
                    &&& exists|e: Seq<(Vec<u8>, Vec<u8>)>| lists_entries(e, final(self).buckets()[bucket@])
                        && values_of(v@, e, 0, e.len() as int)
                },
                Err(e) => e is Database,
            },
    {
        let entries = match self.bucket_entries(bucket) {
            Ok(e) => e,
            Err(e) => { return Err(e); },
        };
        let mut out: Vec<Vec<u8>> = Vec::new();
        let mut i: usize = 0;
        while i < entries.len()
            invariant
                i <= entries@.len(),
                values_of(out@, entries@, 0, i as int),
            decreases entries.len() - i,
        {
            out.push(entries[i].1.clone());
            i = i + 1;
        }
        Ok(out)
    }

    /// The number of entries of the bucket.
    pub fn bucket_len(&mut self, bucket: &str) -> (r: Result<usize, DbError>)
        ensures
            final(self).counters() == old(self).counters(),
            final(self).path() == old(self).path(),
            match r {
                Ok(n) => {
                    &&& same_except(old(self).buckets(), final(self).buckets(), bucket@)
                    &&& old(self).buckets().contains_key(bucket@) ==> final(self).buckets() == old(self).buckets()
                    &&& exists|e: Seq<(Vec<u8>, Vec<u8>)>| lists_entries(e, final(self).buckets()[bucket@]) && n == e.len()
                },
                Err(e) => e is Database,
            },
    {
        match self.bucket_entries(bucket) {
            Ok(e) => Ok(e.len()),
            Err(e) => Err(e),
        }
    }

    // ---- schema versions ----

    /// Whether any schema version is recorded.
    pub fn is_initialized(&mut self) -> (r: Result<bool, DbError>)
        ensures
            final(self).counters() == old(self).counters(),
            final(self).path() == old(self).path(),
            match r {
                Ok(b) => {
                    &&& same_except(old(self).buckets(), final(self).buckets(), migration_bucket())
                    &&& old(self).buckets().contains_key(migration_bucket()) ==> final(self).buckets() == old(self).buckets()
                    &&& b == exists|k: Seq<u8>| #[trigger] final(self).buckets()[migration_bucket()].contains_key(k)
                },
                Err(e) => e is Database && (old(self).buckets().contains_key(migration_bucket())
                    ==> final(self).buckets() == old(self).buckets()),
            },
    {
        let entries = match self.bucket_entries("migration") {
            Ok(e) => e,
            Err(e) => { return Err(e); },
        };
        proof {
            if entries@.len() > 0 {
                assert(self.buckets()[migration_bucket()].contains_key(entries@[0].0@));
            }
        }
        Ok(entries.len() > 0)
    }

    /// Records a schema version with its name written as a JSON string.
    pub fn apply_migration(&mut self, version: i64, name: &str) -> (r: Result<(), DbError>)
        ensures
            final(self).counters() == old(self).counters(),
            final(self).path() == old(self).path(),
            match r {
                Ok(_) => {
                    &&& same_except(old(self).buckets(), final(self).buckets(), migration_bucket())
                    &&& final(self).buckets()[migration_bucket()].contains_key(version_key(version))
                    &&& final(self).buckets()[migration_bucket()][version_key(version)] == json_string_bytes(name@)
                    &&& old(self).buckets().contains_key(migration_bucket()) ==> final(self).buckets()[migration_bucket()]
                        == old(self).buckets()[migration_bucket()].insert(version_key(version), json_string_bytes(name@))
                },
                Err(e) => e is Database || e is Json,
            },
    {
        let ghost before = self.buckets();
        match self.open_bucket("migration") {
            Ok(_) => {},
            Err(e) => { return Err(e); },
        }
        let ghost mid = self.buckets();
        let key = version_key_bytes(version);
        let value = match json_encode_string(name) {
            Ok(v) => v,
            Err(e) => { return Err(DbError::Json(json_error_text(&e))); },
        };
        let r = self.bucket_insert("migration", key.as_slice(), value.as_slice());
        proof {
            if r is Ok {
                lemma_same_except_trans(before, mid, self.buckets(), migration_bucket());
            }
        }
        r
    }

    /// Whether a schema version is recorded.
    pub fn is_migration_applied(&mut self, version: i64) -> (r: Result<bool, DbError>)
        ensures
            final(self).counters() == old(self).counters(),
            final(self).path() == old(self).path(),
            match r {
                Ok(b) => {
                    &&& same_except(old(self).buckets(), final(self).buckets(), migration_bucket())
                    &&& old(self).buckets().contains_key(migration_bucket()) ==> final(self).buckets() == old(self).buckets()
                    &&& b == final(self).buckets()[migration_bucket()].contains_key(version_key(version))
                },
                Err(e) => e is Database && (old(self).buckets().contains_key(migration_bucket())
                    ==> final(self).buckets() == old(self).buckets()),
            },
    {
        let key = version_key_bytes(version);
        match self.bucket_get("migration", key.as_slice()) {
            Ok(v) => Ok(v.is_some()),
            Err(e) => Err(e),
        }
    }

    // ---- options ----

    /// Every option, in key order, with key and value decoded as
    /// `String::from_utf8_lossy` does.
    pub fn get_options(&mut self) -> (r: Result<Vec<(String, String)>, DbError>)
        ensures
            final(self).counters() == old(self).counters(),
            final(self).path() == old(self).path(),
            match r {
                Ok(v) => {
                    &&& same_except(old(self).buckets(), final(self).buckets(), options_bucket())
                    &&& old(self).buckets().contains_key(options_bucket()) ==> final(self).buckets() == old(self).buckets()
                    &&& exists|e: Seq<(Vec<u8>, Vec<u8>)>| {
                        &&& lists_entries(e, final(self).buckets()[options_bucket()])
                        &&& v@.len() == e.len()
                        &&& forall|i: int| 0 <= i < e.len() ==> v@[i].0@ == utf8_lossy(#[trigger] e[i].0@)
                            && v@[i].1@ == utf8_lossy(e[i].1@)
                        &&& forall|i: int| 0 <= i < e.len() && valid_utf8(#[trigger] e[i].0@) ==> v@[i].0@ == decode_utf8(e[i].0@)
                        &&& forall|i: int| 0 <= i < e.len() && valid_utf8(#[trigger] e[i].1@) ==> v@[i].1@ == decode_utf8(e[i].1@)
                    }
                },
                Err(e) => e is Database && (old(self).buckets().contains_key(options_bucket())
                    ==> final(self).buckets() == old(self).buckets()),
            },
    {
        let entries = match self.bucket_entries("options") {
            Ok(e) => e,
            Err(e) => { return Err(e); },
        };
        let mut out: Vec<(String, String)> = Vec::new();
        let mut i: usize = 0;
        while i < entries.len()
            invariant
                i <= entries@.len(),
                out@.len() == i,
                forall|j: int| 0 <= j < i ==> out@[j].0@ == utf8_lossy(#[trigger] entries@[j].0@)
                    && out@[j].1@ == utf8_lossy(entries@[j].1@),
                forall|j: int| 0 <= j < i && valid_utf8(#[trigger] entries@[j].0@) ==> out@[j].0@ == decode_utf8(entries@[j].0@),
                forall|j: int| 0 <= j < i && valid_utf8(#[trigger] entries@[j].1@) ==> out@[j].1@ == decode_utf8(entries@[j].1@),
            decreases entries.len() - i,
        {
            let k = decode_lossy(entries[i].0.as_slice());
            let v = decode_lossy(entries[i].1.as_slice());
            let ghost before = out@;
            out.push((k, v));
            proof {
                assert forall|j: int| 0 <= j < i + 1 implies out@[j].0@ == utf8_lossy(#[trigger] entries@[j].0@)
                    && out@[j].1@ == utf8_lossy(entries@[j].1@)
                    && (valid_utf8(entries@[j].0@) ==> out@[j].0@ == decode_utf8(entries@[j].0@))
                    && (valid_utf8(entries@[j].1@) ==> out@[j].1@ == decode_utf8(entries@[j].1@)) by {
                    if j < i {
                        assert(out@[j] == before[j]);
                    }
                }
            }
            i = i + 1;
        }
        Ok(out)
    }

    /// The value of an option, decoded as `String::from_utf8_lossy` does, if it is set.
    pub fn get_option(&mut self, key: &str) -> (r: Result<Option<String>, DbError>)
        ensures
            final(self).counters() == old(self).counters(),
            final(self).path() == old(self).path(),
            match r {
                Ok(v) => {
                    let m = final(self).buckets()[options_bucket()];
                    &&& same_except(old(self).buckets(), final(self).buckets(), options_bucket())
                    &&& old(self).buckets().contains_key(options_bucket()) ==> final(self).buckets() == old(self).buckets()
                    &&& match v {
                        Some(s) => {
                            &&& m.contains_key(text_bytes(key@))
                            &&& s@ == utf8_lossy(m[text_bytes(key@)])
                            &&& valid_utf8(m[text_bytes(key@)]) ==> s@ == decode_utf8(m[text_bytes(key@)])
                        },
                        None => !m.contains_key(text_bytes(key@)),
                    }
                },
                Err(e) => e is Database && (old(self).buckets().contains_key(options_bucket())
                    ==> final(self).buckets() == old(self).buckets()),
            },
    {
        let k = text_to_bytes(key);
        match self.bucket_get("options", k.as_slice()) {
            Ok(Some(v)) => Ok(Some(decode_lossy(v.as_slice()))),
            Ok(None) => Ok(None),
            Err(e) => Err(e),
        }
    }

    /// Sets an option.
    pub fn set_option(&mut self, key: &str, value: &str) -> (r: Result<(), DbError>)
        ensures
            final(self).counters() == old(self).counters(),
            final(self).path() == old(self).path(),
            match r {
                Ok(_) => {
                    &&& same_except(old(self).buckets(), final(self).buckets(), options_bucket())
                    &&& final(self).buckets()[options_bucket()].contains_key(text_bytes(key@))
                    &&& final(self).buckets()[options_bucket()][text_bytes(key@)] == text_bytes(value@)
                    &&& old(self).buckets().contains_key(options_bucket()) ==> final(self).buckets()[options_bucket()]
                        == old(self).buckets()[options_bucket()].insert(text_bytes(key@), text_bytes(value@))
                },
                Err(e) => e is Database,
            },
    {
        let k = text_to_bytes(key);
        let v = text_to_bytes(value);
        self.bucket_insert("options", k.as_slice(), v.as_slice())
    }

    /// Unsets an option.
    pub fn delete_option(&mut self, key: &str) -> (r: Result<(), DbError>)
        ensures
            final(self).counters() == old(self).counters(),
            final(self).path() == old(self).path(),
            match r {
                Ok(_) => {
                    &&& same_except(old(self).buckets(), final(self).buckets(), options_bucket())
                    &&& !final(self).buckets()[options_bucket()].contains_key(text_bytes(key@))
                    &&& old(self).buckets().contains_key(options_bucket()) ==> final(self).buckets()[options_bucket()]
                        == old(self).buckets()[options_bucket()].remove(text_bytes(key@))
                },
                Err(e) => e is Database,
            },
    {
        let k = text_to_bytes(key);
        match self.bucket_remove("options", k.as_slice()) {
            Ok(_) => Ok(()),
            Err(e) => Err(e),
        }
    }
}

/// A record written under an id is what a read of that id then gives, and
/// every other record of the bucket reads as it did before.
pub proof fn law_record_write_isolated(bucket: Map<Seq<u8>, Seq<u8>>, id: i32, value: Seq<u8>, other: i32)
    requires
        id >= 0,
        other >= 0,
    ensures
        bucket.insert(record_key(id as int), value).contains_key(record_key(id as int)),
        bucket.insert(record_key(id as int), value)[record_key(id as int)] == value,
        other != id ==> {
            &&& bucket.insert(record_key(id as int), value).contains_key(record_key(other as int))
                == bucket.contains_key(record_key(other as int))
            &&& bucket.contains_key(record_key(other as int)) ==> bucket.insert(record_key(id as int), value)[record_key(other as int)]
                == bucket[record_key(other as int)]
        },
{
    if other != id && record_key(id as int) == record_key(other as int) {
        lemma_record_key_injective(id as int, other as int);
    }
}

/// A record removed by id reads as missing, and every other record of the
/// bucket reads as it did before.
pub proof fn law_record_remove_isolated(bucket: Map<Seq<u8>, Seq<u8>>, id: i32, other: i32)
    requires
        id >= 0,
        other >= 0,
    ensures
        !bucket.remove(record_key(id as int)).contains_key(record_key(id as int)),
        other != id ==> {
            &&& bucket.remove(record_key(id as int)).contains_key(record_key(other as int))
                == bucket.contains_key(record_key(other as int))
            &&& bucket.contains_key(record_key(other as int)) ==> bucket.remove(record_key(id as int))[record_key(other as int)]
                == bucket[record_key(other as int)]
        },
{
    if other != id && record_key(id as int) == record_key(other as int) {
        lemma_record_key_injective(id as int, other as int);
    }
}

/// An object written under an id is what a read of that id then gives, and
/// every other object of the bucket reads as it did before.
pub proof fn law_object_write_isolated(bucket: Map<Seq<u8>, Seq<u8>>, id: i32, value: Seq<u8>, other: i32)
    requires
        id >= 0,
        other >= 0,
    ensures
        bucket.insert(object_key(id as int), value).contains_key(object_key(id as int)),
        bucket.insert(object_key(id as int), value)[object_key(id as int)] == value,
        other != id ==> {
            &&& bucket.insert(object_key(id as int), value).contains_key(object_key(other as int))
                == bucket.contains_key(object_key(other as int))
            &&& bucket.contains_key(object_key(other as int)) ==> bucket.insert(object_key(id as int), value)[object_key(other as int)]
                == bucket[object_key(other as int)]
        },
{
    if other != id && object_key(id as int) == object_key(other as int) {
        lemma_object_key_injective(id as int, other as int);
    }
}

/// An option that was set reads back as the text it was set to, one that
/// was deleted reads as unset, and every other option reads as before.
pub proof fn law_option_read_after_write(bucket: Map<Seq<u8>, Seq<u8>>, key: Seq<char>, value: Seq<char>, other: Seq<char>)
    ensures
        ({
            let set = bucket.insert(text_bytes(key), text_bytes(value));
            &&& set.contains_key(text_bytes(key))
            &&& valid_utf8(set[text_bytes(key)])
            &&& decode_utf8(set[text_bytes(key)]) == value
            &&& !bucket.remove(text_bytes(key)).contains_key(text_bytes(key))
            &&& other != key ==> {
                &&& set.contains_key(text_bytes(other)) == bucket.contains_key(text_bytes(other))
                &&& bucket.contains_key(text_bytes(other)) ==> set[text_bytes(other)] == bucket[text_bytes(other)]
                &&& bucket.remove(text_bytes(key)).contains_key(text_bytes(other)) == bucket.contains_key(text_bytes(other))
                &&& bucket.contains_key(text_bytes(other)) ==> bucket.remove(text_bytes(key))[text_bytes(other)]
                    == bucket[text_bytes(other)]
            }
        }),
{
    encode_utf8_valid_utf8(value);
    encode_utf8_decode_utf8(value);
    if other != key && text_bytes(key) == text_bytes(other) {
        lemma_text_bytes_injective(key, other);
    }
}

/// A schema version that was recorded reads as applied, and recording one
/// version leaves every other version as it was.
pub proof fn law_migration_recorded(bucket: Map<Seq<u8>, Seq<u8>>, version: i64, name: Seq<char>, other: i64)
    ensures
        ({
            let after = bucket.insert(version_key(version), json_string_bytes(name));
            &&& after.contains_key(version_key(version))
            &&& other != version ==> after.contains_key(version_key(other)) == bucket.contains_key(version_key(other))
        }),
{
    if other != version && version_key(version) == version_key(other) {
        lemma_version_key_injective(version, other);
    }
}

/// A page of objects starts at position `offset` (at the end where there
/// are no more), and holds `limit` objects, or as many as are left after
/// `offset` where fewer are.
pub proof fn law_object_page_size(len: int, offset: int, limit: int)
    requires
        0 <= len,
        0 <= offset,
        0 <= limit,
    ensures
        offset < len ==> page_start(len, offset) == offset,
        offset >= len ==> page_start(len, offset) == len,
        page_end(len, offset, limit) - page_start(len, offset) == (if offset >= len {
            0
        } else if limit <= len - offset {
            limit
        } else {
            len - offset
        }),
{
}

} // verus!
