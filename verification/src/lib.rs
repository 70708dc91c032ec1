//! Status-gated workflow orchestrator for a multi-stage verification batch job.
//!
//! The crate models the workflow state machine of a verification service:
//! a phase value gates which operations are legal, a state container records
//! the selected period, the input dataset locations, the extraction result and
//! the per-item verification statuses, and pure projection builds the status
//! snapshots handed to callers.

use vstd::prelude::*;

pub mod app_data;
pub mod handler;
pub mod middlewares;
pub mod request;
pub mod response;
pub mod router;
pub mod strings;

verus! {

/// Error carried back to a caller when a request cannot be served:
/// holds the human-readable message.
#[derive(Debug)]
pub struct AppError(pub String);

impl AppError {
    /// The message the error carries.
    pub fn message(&self) -> (r: &String)
        ensures
            r@ == self.0@,
    {
        &self.0
    }
}

} // verus!
