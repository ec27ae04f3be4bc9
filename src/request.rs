//! Request builders: a request message, the options it is sent with, and
//! the stub that will send it.
use crate::options::RequestOptions;
use crate::time::Duration;
use std::sync::Arc;
use vstd::prelude::*;

verus! {

/// Relies on `Arc::clone`: the new pointer shares the allocation of the old
/// one, so it points to the same value.
#[verifier::external_body]
pub(crate) fn share<T>(a: &Arc<T>) -> (r: Arc<T>)
    ensures
        r == *a,
{
    Arc::clone(a)
}

/// A request ready to be sent through a stub of type `S`.
pub struct RequestBuilder<S, R> {
    stub: Arc<S>,
    request: R,
    options: RequestOptions,
}

impl<S, R> RequestBuilder<S, R> {
    pub closed spec fn stub_spec(&self) -> Arc<S> {
        self.stub
    }

    pub closed spec fn request_spec(&self) -> R {
        self.request
    }

    pub closed spec fn options_spec(&self) -> RequestOptions {
        self.options
    }

    /// A builder for `request`, sent through `stub` with default options.
    pub fn new(stub: Arc<S>, request: R) -> (r: Self)
        ensures
            r.stub_spec() == stub,
            r.request_spec() == request,
            r.options_spec().attempt_timeout_spec() is None,
    {
        RequestBuilder { stub, request, options: RequestOptions::new() }
    }

    /// The stub that will send the request.
    pub fn stub(&self) -> (r: &Arc<S>)
        ensures
            *r == self.stub_spec(),
    {
        &self.stub
    }

    /// The request message.
    pub fn request(&self) -> (r: &R)
        ensures
            *r == self.request_spec(),
    {
        &self.request
    }

    /// The options the request is sent with.
    pub fn options(&self) -> (r: &RequestOptions)
        ensures
            *r == self.options_spec(),
    {
        &self.options
    }

    /// Bounds each attempt of the request by `timeout`.
    pub fn with_attempt_timeout(self, timeout: Duration) -> (r: Self)
        ensures
            r.stub_spec() == self.stub_spec(),
            r.request_spec() == self.request_spec(),
            r.options_spec().attempt_timeout_spec() == Some(timeout),
    {
        let mut options = self.options;
        options.set_attempt_timeout(timeout);
        RequestBuilder { stub: self.stub, request: self.request, options }
    }
}

} // verus!
