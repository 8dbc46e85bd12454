//! The distributed-runtime handle: a shared reference to the cross-process
//! coordination layer this service optionally participates in. Absent when
//! the service runs standalone; its transport and discovery protocol are
//! out of scope at this layer, which only stores and shares the handle.

use vstd::prelude::*;

verus! {

/// Handle to the distributed runtime. Carried by shared ownership from the
/// configuration into the service state, never read at this layer.
pub struct DistributedRuntime {}

impl DistributedRuntime {
    /// A distributed-runtime handle.
    pub fn new() -> (r: DistributedRuntime)
        ensures
            r == (DistributedRuntime {  }),
    {
        DistributedRuntime {  }
    }
}

} // verus!
