//! Catalog and query core of an IPTV channel manager: schema management,
//! a filter-to-query compiler, and the repositories for sources, groups,
//! channels, HTTP headers and settings, stored in SQLite.
pub mod cache;
pub mod db;
pub mod media_type;
pub mod query;
pub mod rows;
pub mod source_type;
pub mod sql;
pub mod statements;
pub mod types;
pub mod view_type;
