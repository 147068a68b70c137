//! An in-memory cache of order records that follows a durable store.
//!
//! Orders arrive as JSON payloads on a message channel. Each payload is
//! decoded, handed to the store, and only once the store has accepted it made
//! visible in the cache. Queries read the cache alone. At startup the cache is
//! rebuilt from everything the store holds.
//!
//! The crate holds the rules of that flow; connections, locks and sockets
//! belong to the program around it.

pub mod cache;
pub mod config;
pub mod json;
pub mod model;
pub mod publisher;
pub mod query;
pub mod subscriber;
pub mod text;
pub mod timestamp;
