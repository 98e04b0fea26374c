//! An in-memory order book for a restaurant floor.
//!
//! Tablets hand requests to a single dispatcher, which owns the store and
//! serves one request at a time. The dispatcher and the tablet's workload
//! policy are written as step functions; the threads and queues that drive
//! them live outside this crate.

pub mod dispatcher;
pub mod random;
pub mod store;
pub mod tablet;
pub mod theorems;
pub mod types;
