//! A read-through archive of tweets, user data and reply conversations.
//!
//! The library holds the archive's logic: the tweet model, the
//! lookups and deduplicating merges of the persisted snapshots, and the walk
//! that rebuilds a reply conversation from its leaf tweet. Fetching from the
//! remote API, reading and writing snapshot files and serving HTTP are done by
//! the caller, which hands the results to these functions.
pub mod conversation;
pub mod routes;
pub mod snapshot;
pub mod tweet;
pub mod user_data;
