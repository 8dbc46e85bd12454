//! The metrics handle and its registry. The composition layer guarantees
//! that the metrics handle registers into a fresh registry exactly once per
//! built service; the metrics schema itself is out of scope here.

use vstd::prelude::*;

verus! {

/// Shared metrics handle, created exactly once per service instance. Its
/// counters are owned and synchronized by the metrics subsystem; this layer
/// only creates, registers and shares the handle.
pub struct Metrics {}

impl Default for Metrics {
    /// A fresh, unregistered metrics handle.
    fn default() -> (m: Metrics)
        ensures
            m == (Metrics {  }),
    {
        Metrics {  }
    }
}

/// Error raised when a metrics handle is registered into a registry that
/// already holds one.
#[derive(Clone, Copy, PartialEq, Eq, Structural, Debug)]
pub enum RegisterError {
    AlreadyRegistered,
}

/// A metrics registry. Exactly one metrics handle may register into it.
pub struct Registry {
    metrics_registered: bool,
}

impl Registry {
    /// Whether a metrics handle has registered into this registry.
    pub closed spec fn spec_registered(&self) -> bool {
        self.metrics_registered
    }

    /// A fresh registry with nothing registered.
    pub fn new() -> (r: Registry)
        ensures
            !r.spec_registered(),
    {
        Registry { metrics_registered: false }
    }

    /// Whether a metrics handle has registered into this registry.
    pub fn is_registered(&self) -> (b: bool)
        ensures
            b == self.spec_registered(),
    {
        self.metrics_registered
    }
}

impl Clone for Registry {
    /// A registry in the same registration state.
    fn clone(&self) -> (r: Registry)
        ensures
            r.spec_registered() == self.spec_registered(),
    {
        Registry { metrics_registered: self.metrics_registered }
    }
}

impl Metrics {
    /// Registers this handle into the registry. Succeeds exactly when no
    /// handle has registered before; afterwards the registry always holds
    /// one, so a second registration fails and changes nothing further.
    pub fn register(&self, registry: &mut Registry) -> (r: Result<(), RegisterError>)
        ensures
            r is Ok <==> !old(registry).spec_registered(),
            final(registry).spec_registered(),
    {
        if registry.metrics_registered {
            Err(RegisterError::AlreadyRegistered)
        } else {
            registry.metrics_registered = true;
            Ok(())
        }
    }
}

} // verus!
