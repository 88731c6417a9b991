//! Repository browsing core: a loading/sync state machine, a partitioned
//! snapshot cache and a text filter, with every function verified.

pub mod app;
pub mod db;
pub mod erust;
pub mod host;
pub mod notification;
pub mod text;
