//! An in-memory key-value cache in which every entry may carry an expiry
//! time. Entries whose time-to-live has elapsed are invisible to readers,
//! though they may linger physically until a write, a removal or a sweep
//! touches them.
//!
//! Storage is a `dashmap::DashMap`; every operation on it goes through a
//! small set of trusted wrappers, and all cache logic above those wrappers
//! is verified.

pub mod cache;
pub mod item;
mod store;
pub mod time;
