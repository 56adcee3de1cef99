//! The failure taxonomy of the watcher.
//!
//! A token-exchange failure is fatal for the cycle loop; a fetch or decode
//! failure is scoped to the single query that raised it; a notification
//! failure is scoped to the single event. The store commit never depends on
//! the notification outcome.

use vstd::prelude::*;

verus! {

/// The token exchange failed; fatal for the cycle loop.
#[derive(Debug)]
pub struct AuthError {
    pub message: String,
}

/// Why one query produced no items this cycle. Recoverable: the query is
/// skipped and the cycle proceeds.
#[derive(Debug)]
pub enum QueryFailure {
    /// The search API answered with a non-success status; the raw body is
    /// kept for diagnostics.
    Http { status: u16, body: String },
    /// The response body did not decode into item records.
    Decode { message: String },
}

/// A notification could not be delivered. Recoverable: the event is skipped
/// and the new state stays committed to the store.
#[derive(Debug)]
pub struct NotifyError {
    pub message: String,
}

} // verus!
