//! An event log keyed by timestamp: the storage contract that a backing
//! engine has to meet, an in-memory engine that meets it, and the event
//! service that stores, fetches and removes events through that contract.

pub mod clock;
pub mod concurrent_map;
pub mod database;
pub mod encoding;
pub mod history;
pub mod service;
