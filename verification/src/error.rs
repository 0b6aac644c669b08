use vstd::prelude::*;
use crate::text::{append_chars, chars_of, decimal_int, push_int, string_of};

verus! {

/// Errors reported by the storage layer.
#[derive(Debug)]
pub enum DbError {
    /// The requested object does not exist.
    NotFound(String),
    /// A failure of the underlying database engine, with its message.
    Database(String),
    /// A value could not be encoded or decoded.
    Json(String),
    /// Any other failure, with its message.
    Other(String),
}

impl DbError {
    /// Whether this error reports a missing object.
    pub fn is_not_found(&self) -> (r: bool)
        ensures
            r == (*self is NotFound),
    {
        match self {
            DbError::NotFound(_) => true,
            _ => false,
        }
    }
}

/// The error that an object is missing, with the message `prefix id suffix`.
pub fn not_found_with_id(prefix: &str, id: i64, suffix: &str) -> (e: DbError)
    ensures
        e matches DbError::NotFound(m) && m@ == prefix@ + decimal_int(id as int) + suffix@,
{
    let mut msg = chars_of(prefix);
    push_int(id, &mut msg);
    append_chars(&mut msg, &chars_of(suffix));
    DbError::NotFound(string_of(&msg))
}

/// The error that an object is missing, with the given message.
pub fn not_found(msg: &str) -> (e: DbError)
    ensures
        e matches DbError::NotFound(m) && m@ == msg@,
{
    DbError::NotFound(msg.to_owned())
}

} // verus!
