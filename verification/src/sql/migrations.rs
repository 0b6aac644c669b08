//! Bookkeeping of the schema versions applied to a PostgreSQL database.
use vstd::prelude::*;
use crate::text::{append_chars, chars_of, string_of};

verus! {

/// Keeps the applied schema versions in a table of their own.
pub struct MigrationManager {
    /// The table that lists applied versions.
    pub table_name: String,
}

impl Default for MigrationManager {
    fn default() -> (m: Self)
        ensures
            m.table_name@ == "migration"@,
    {
        Self::new()
    }
}

/// `head` + table name + `tail`.
pub open spec fn table_query(head: Seq<char>, table: Seq<char>, tail: Seq<char>) -> Seq<char> {
    head + table + tail
}

impl MigrationManager {
    /// A manager keeping versions in the table `migration`.
    pub fn new() -> (m: Self)
        ensures
            m.table_name@ == "migration"@,
    {
        MigrationManager { table_name: "migration".to_owned() }
    }

    fn around_table(&self, head: &str, tail: &str) -> (q: String)
        ensures
            q@ == table_query(head@, self.table_name@, tail@),
    {
        let mut out = chars_of(head);
        append_chars(&mut out, &chars_of(self.table_name.as_str()));
        append_chars(&mut out, &chars_of(tail));
        string_of(&out)
    }

    /// The statement creating the version table if it is missing.
    pub fn ensure_table_query(&self) -> (q: String)
        ensures
            q@ == table_query("CREATE TABLE IF NOT EXISTS "@, self.table_name@,
                " (version BIGINT PRIMARY KEY, name VARCHAR(255))"@),
    {
        self.around_table("CREATE TABLE IF NOT EXISTS ", " (version BIGINT PRIMARY KEY, name VARCHAR(255))")
    }

    /// The query counting the rows of a version, bound as `$1`.
    pub fn applied_query(&self) -> (q: String)
        ensures
            q@ == table_query("SELECT COUNT(*) FROM "@, self.table_name@, " WHERE version = $1"@),
    {
        self.around_table("SELECT COUNT(*) FROM ", " WHERE version = $1")
    }

    /// The statement recording a version `$1` with its name `$2`, replacing
    /// the name of a version already recorded.
    pub fn apply_query(&self) -> (q: String)
        ensures
            q@ == table_query("INSERT INTO "@, self.table_name@,
                " (version, name) VALUES ($1, $2) ON CONFLICT (version) DO UPDATE SET name = EXCLUDED.name"@),
    {
        self.around_table("INSERT INTO ",
            " (version, name) VALUES ($1, $2) ON CONFLICT (version) DO UPDATE SET name = EXCLUDED.name")
    }

    /// The query reading the highest recorded version.
    pub fn latest_version_query(&self) -> (q: String)
        ensures
            q@ == table_query("SELECT MAX(version) FROM "@, self.table_name@, ""@),
    {
        self.around_table("SELECT MAX(version) FROM ", "")
    }

    /// Whether a version is applied, given how many rows record it.
    pub fn is_applied_from_count(count: i64) -> (r: bool)
        ensures
            r == (count > 0),
    {
        count > 0
    }

    /// The latest version, given the row that the maximum query returned, if any.
    pub fn latest_version_from_row(row: Option<Option<i64>>) -> (r: Option<i64>)
        ensures
            r == match row { Some(v) => v, None => None },
    {
        match row {
            Some(v) => v,
            None => None,
        }
    }
}

} // verus!
