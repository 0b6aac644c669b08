# semaphore_db

The storage layer of a Semaphore-style automation server, written in Verus.

- `src/` is the verified library:
  - `bolt/`: the key-value store on sled. `keys` encodes ids, versions and
    bucket names; `engine` holds the calls into sled; `store` keeps the open
    buckets and the per-bucket id counters; `objects` stores objects, records,
    schema versions and options; `users`, `tasks`, `templates`, `events`,
    `schedules`, `sessions` and `projects` hold the decisions of each entity:
    new records, searches, paging, sorting and lookups.
  - `sql/`: the PostgreSQL side: connection settings and URL parsing, the
    schema-version table, and the audit log (its names, the conversion of its
    rows and the queries of a search).
  - `mock`: an in-memory store for tests.
  - `page`, `sort`, `table`, `assoc`, `text`, `time`, `password`, `model`,
    `error`: shared pieces.
- `app/` turns stored JSON into values and back, and talks to PostgreSQL.
- `tests/` runs the library on concrete values.
