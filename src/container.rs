//! The Kubernetes Engine cluster manager stub, decorated with tracing.
use vstd::prelude::*;

verus! {

/// Decorates a cluster manager stub so that each call is logged and traced;
/// the calls themselves go to `inner`.
pub struct ClusterManager<T> {
    inner: T,
}

impl<T> ClusterManager<T> {
    pub closed spec fn inner_spec(&self) -> T {
        self.inner
    }

    /// Decorates `inner`.
    pub fn new(inner: T) -> (r: Self)
        ensures
            r.inner_spec() == inner,
    {
        ClusterManager { inner }
    }

    /// The decorated stub.
    pub fn inner(&self) -> (r: &T)
        ensures
            *r == self.inner_spec(),
    {
        &self.inner
    }
}

} // verus!
