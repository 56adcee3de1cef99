//! Core of an item-price watcher: a poll/diff/notify pipeline over a paginated
//! search API.
//!
//! The verified library holds the state and the decisions of the watcher: the
//! credential-lifetime policy, the snapshot store of previously observed items,
//! the change classifier (new, price-updated, unchanged), and the per-cycle
//! processing that tolerates per-query failures and suppresses notifications
//! during the warm-up pass. The surrounding process performs the network calls
//! and hands their results to this library as plain values.

pub mod classifier;
pub mod credential;
pub mod errors;
pub mod fetcher;
pub mod id_db;
pub mod item_summary;
pub mod poll;
pub mod store;
pub mod text;
