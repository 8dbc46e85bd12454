//! The model registry handle and the discovery-service client.
//!
//! Both are collaborators whose internals are out of scope at this layer:
//! the model registry indexes the served models for the request handlers,
//! and the discovery client knows the live worker endpoints of the fleet.
//! This layer creates, shares and gates on them, and reads nothing inside.

use vstd::prelude::*;

verus! {

/// Handle to the model registry shared with every request handler. Its
/// indexing is owned and synchronized by the registry subsystem.
pub struct ModelManager {}

impl ModelManager {
    /// A fresh model registry handle.
    pub fn new() -> (m: ModelManager)
        ensures
            m == (ModelManager {  }),
    {
        ModelManager {  }
    }
}

/// Client of the discovery service. Its presence at finalize time — an
/// environment fact, not a configuration choice — gates the worker-listing
/// endpoint group.
#[derive(Clone, Copy, PartialEq, Eq, Structural, Debug)]
pub struct DiscoveryClient {}

impl DiscoveryClient {
    /// A discovery-service client handle.
    pub fn new() -> (c: DiscoveryClient)
        ensures
            c == (DiscoveryClient {  }),
    {
        DiscoveryClient {  }
    }
}

} // verus!
