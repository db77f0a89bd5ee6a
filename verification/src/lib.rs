//! Fanling: a store for personal data items (pages and tasks), kept in a
//! git repository and searchable from a local database.
pub mod kvlist;
pub mod interface;
pub mod clock;
pub mod repo_shared;
pub mod text;
pub mod repo_plan;
pub mod shared;
pub mod item;
pub mod world;
pub mod convert;
pub mod task;
pub mod store;
pub mod engine;
pub mod keys;
pub mod random;
pub mod c_interface;
pub mod pc;
pub mod search;
pub mod edits;
