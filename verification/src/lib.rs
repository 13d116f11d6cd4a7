//! Aggregates metadata about a user's source-code repositories: a
//! per-repository configuration file is fetched, decoded and parsed, the
//! repository list is filtered against an exclusion list, and the results are
//! reconciled into a persistent store.
//!
//! The verified core is the configuration resolution algorithm and the
//! synchronization (reconciliation) logic.  Network and database access live
//! outside the library; callers hand in fetched bytes and store snapshots and
//! carry out the write plans the library computes.
pub mod api;
pub mod config;
pub mod content;
pub mod env;
pub mod error;
pub mod exclusions;
pub mod filter;
pub mod resolver;
pub mod schema;
pub mod strutil;
pub mod sync;
pub mod toml_tree;
