//! Composition and lifecycle layer of an HTTP model-serving front end.
//!
//! The crate builds a shared, concurrently readable service state, assembles
//! a fixed but conditionally enabled set of endpoint groups into one ordered
//! dispatch table, and models the serve/shutdown lifecycle as an explicit
//! state machine with hierarchical cancellation.

use vstd::prelude::*;

pub mod discovery;
pub mod docs;
pub mod lifecycle;
pub mod metrics;
pub mod request_template;
pub mod routes;
pub mod runtime;
pub mod service;
pub mod state;

verus! {

/// Error returned when finalizing a service configuration fails.
#[derive(Clone, Copy, PartialEq, Eq, Structural, Debug)]
pub enum BuildError {
    /// The metrics handle could not be registered with the metrics registry.
    MetricsRegistration,
}

} // verus!
