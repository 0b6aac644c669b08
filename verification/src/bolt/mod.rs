//! The key-value store on sled: buckets of records under encoded keys,
//! and the selections that listings make of the records.
pub mod keys;
pub mod engine;
pub mod store;
pub mod objects;
pub mod users;
pub mod tasks;
pub mod templates;
pub mod events;
pub mod schedules;
pub mod sessions;
pub mod projects;
pub mod sequence;
