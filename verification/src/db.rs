//! Records fetched from the search service and the cache that holds them.

pub mod github;
pub mod idb;
