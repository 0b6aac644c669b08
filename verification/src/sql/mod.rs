//! The PostgreSQL store: connection settings, schema bookkeeping and the
//! audit log's queries and row conversion.
pub mod config;
pub mod audit_log;
pub mod migrations;
