//! The shared service state: metrics handle, model-registry handle and the
//! optional distributed-runtime handle, aggregated once at build time and
//! handed by shared ownership to every concurrently scheduled request task.
//! None of the fields is ever reassigned after construction; any mutation
//! happens inside the owned subsystems.

use std::sync::Arc;
use std::time::Duration;

use vstd::prelude::*;

use crate::discovery::ModelManager;
use crate::metrics::Metrics;
use crate::runtime::DistributedRuntime;

verus! {

/// Immutable-after-construction aggregate shared with every request handler.
pub struct State {
    metrics: Arc<Metrics>,
    manager: Arc<ModelManager>,
    runtime: Option<Arc<DistributedRuntime>>,
}

impl State {
    /// The metrics handle held by this state.
    pub closed spec fn spec_metrics(&self) -> Metrics {
        *self.metrics
    }

    /// The model-registry handle held by this state.
    pub closed spec fn spec_manager(&self) -> ModelManager {
        *self.manager
    }

    /// The distributed-runtime handle held by this state, if any.
    pub closed spec fn spec_runtime(&self) -> Option<DistributedRuntime> {
        match self.runtime {
            Some(rt) => Some(*rt),
            None => None,
        }
    }

    /// Standalone state: no distributed-runtime handle. Creates the
    /// service's fresh metrics handle. Construction cannot fail.
    pub fn new(manager: Arc<ModelManager>) -> (s: State)
        ensures
            s.spec_manager() == *manager,
            s.spec_runtime() is None,
            s.spec_metrics() == (Metrics {  }),
    {
        State { manager, metrics: Arc::new(Metrics::default()), runtime: None }
    }

    /// Runtime-attached state. Creates the service's fresh metrics handle.
    /// Construction cannot fail.
    pub fn with_runtime(manager: Arc<ModelManager>, runtime: Arc<DistributedRuntime>) -> (s: State)
        ensures
            s.spec_manager() == *manager,
            s.spec_runtime() == Some(*runtime),
            s.spec_metrics() == (Metrics {  }),
    {
        State { manager, metrics: Arc::new(Metrics::default()), runtime: Some(runtime) }
    }

    /// Shares the metrics handle.
    pub fn metrics_clone(&self) -> (m: Arc<Metrics>)
        ensures
            *m == self.spec_metrics(),
    {
        self.metrics.clone()
    }

    /// Read-only access to the model registry.
    pub fn manager(&self) -> (m: &ModelManager)
        ensures
            *m == self.spec_manager(),
    {
        &*self.manager
    }

    /// Shares the model-registry handle.
    pub fn manager_clone(&self) -> (m: Arc<ModelManager>)
        ensures
            *m == self.spec_manager(),
    {
        self.manager.clone()
    }

    /// Read-only access to the distributed runtime, if this state holds one.
    pub fn runtime(&self) -> (r: Option<&DistributedRuntime>)
        ensures
            r is Some <==> self.spec_runtime() is Some,
            r matches Some(rt) ==> self.spec_runtime() == Some(*rt),
    {
        match &self.runtime {
            Some(rt) => Some(&**rt),
            None => None,
        }
    }

    /// Keep-alive period for server-sent event streams; the layer does not
    /// configure one.
    pub fn sse_keep_alive(&self) -> (d: Option<Duration>)
        ensures
            d is None,
    {
        None
    }
}

} // verus!
